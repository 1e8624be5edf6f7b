//! The JSON-like value space of annotation payloads, its mathematical model,
//! and keyed entry lists with map semantics.
use vstd::prelude::*;
use crate::text::text_eq;

verus! {

/// An annotation value. Numbers are held as their decimal text.
#[derive(Debug)]
pub enum NoteValue {
    Null,
    Bool(bool),
    Number(String),
    Text(String),
    List(Vec<NoteValue>),
    Object(Vec<(String, NoteValue)>),
}

/// The mathematical model of a `NoteValue`.
pub enum NoteVal {
    Null,
    Bool(bool),
    Number(Seq<char>),
    Text(Seq<char>),
    List(Seq<NoteVal>),
    Object(Seq<(Seq<char>, NoteVal)>),
}

/// Model of a list of values.
pub open spec fn list_view(s: Seq<NoteValue>) -> Seq<NoteVal>
    decreases s,
{
    if s.len() == 0 {
        Seq::empty()
    } else {
        list_view(s.drop_last()).push(value_view(s.last()))
    }
}

/// Model of a list of keyed entries.
pub open spec fn entries_view(s: Seq<(String, NoteValue)>) -> Seq<(Seq<char>, NoteVal)>
    decreases s,
{
    if s.len() == 0 {
        Seq::empty()
    } else {
        entries_view(s.drop_last()).push((s.last().0@, value_view(s.last().1)))
    }
}

/// Model of a value.
pub open spec fn value_view(v: NoteValue) -> NoteVal
    decreases v,
{
    match v {
        NoteValue::Null => NoteVal::Null,
        NoteValue::Bool(b) => NoteVal::Bool(b),
        NoteValue::Number(t) => NoteVal::Number(t@),
        NoteValue::Text(t) => NoteVal::Text(t@),
        NoteValue::List(items) => NoteVal::List(list_view(items@)),
        NoteValue::Object(es) => NoteVal::Object(entries_view(es@)),
    }
}

impl View for NoteValue {
    type V = NoteVal;

    open spec fn view(&self) -> NoteVal {
        value_view(*self)
    }
}


/// The keys of a model entry list.
pub open spec fn keys_of<V>(s: Seq<(Seq<char>, V)>) -> Seq<Seq<char>> {
    s.map_values(|e: (Seq<char>, V)| e.0)
}

/// The keys of an executable entry list.
pub open spec fn string_keys<V>(s: Seq<(String, V)>) -> Seq<Seq<char>> {
    s.map_values(|e: (String, V)| e.0@)
}

/// Position of the last occurrence of `k` among the first `n` keys, or -1.
pub open spec fn key_pos(keys: Seq<Seq<char>>, k: Seq<char>, n: int) -> int
    decreases n,
{
    if n <= 0 {
        -1
    } else if keys[n - 1] == k {
        n - 1
    } else {
        key_pos(keys, k, n - 1)
    }
}

/// Position of the entry for `k`, or -1 when there is none.
pub open spec fn index_of<V>(s: Seq<(Seq<char>, V)>, k: Seq<char>) -> int {
    key_pos(keys_of(s), k, s.len() as int)
}

pub open spec fn has_key<V>(s: Seq<(Seq<char>, V)>, k: Seq<char>) -> bool {
    index_of(s, k) >= 0
}

/// The value stored under `k`.
pub open spec fn get<V>(s: Seq<(Seq<char>, V)>, k: Seq<char>) -> Option<V> {
    if has_key(s, k) {
        Some(s[index_of(s, k)].1)
    } else {
        None
    }
}

/// Map insertion: replaces the value of an existing key in place, or appends.
pub open spec fn put<V>(s: Seq<(Seq<char>, V)>, k: Seq<char>, v: V) -> Seq<(Seq<char>, V)> {
    if has_key(s, k) {
        s.update(index_of(s, k), (k, v))
    } else {
        s.push((k, v))
    }
}

/// Map removal: drops the entry of `k`, keeping the order of the others.
pub open spec fn without<V>(s: Seq<(Seq<char>, V)>, k: Seq<char>) -> Seq<(Seq<char>, V)> {
    if has_key(s, k) {
        s.remove(index_of(s, k))
    } else {
        s
    }
}

/// No key occurs twice.
pub open spec fn keys_unique<V>(s: Seq<(Seq<char>, V)>) -> bool {
    forall|i: int, j: int| 0 <= i < j < s.len() ==> s[i].0 != s[j].0
}

pub proof fn lemma_key_pos(keys: Seq<Seq<char>>, k: Seq<char>, n: int)
    requires
        0 <= n <= keys.len(),
    ensures
        -1 <= key_pos(keys, k, n) < n,
        key_pos(keys, k, n) >= 0 ==> keys[key_pos(keys, k, n)] == k,
        key_pos(keys, k, n) >= 0 ==> forall|j: int| key_pos(keys, k, n) < j < n ==> keys[j] != k,
        key_pos(keys, k, n) == -1 ==> forall|j: int| 0 <= j < n ==> keys[j] != k,
    decreases n,
{
    if n > 0 {
        lemma_key_pos(keys, k, n - 1);
    }
}

pub proof fn lemma_key_pos_prefix(a: Seq<Seq<char>>, b: Seq<Seq<char>>, k: Seq<char>, n: int)
    requires
        0 <= n <= a.len(),
        n <= b.len(),
        forall|i: int| 0 <= i < n ==> a[i] == b[i],
    ensures
        key_pos(a, k, n) == key_pos(b, k, n),
    decreases n,
{
    if n > 0 {
        lemma_key_pos_prefix(a, b, k, n - 1);
    }
}

pub proof fn lemma_key_pos_same(a: Seq<Seq<char>>, b: Seq<Seq<char>>, k: Seq<char>, n: int)
    requires
        0 <= n <= a.len(),
        n <= b.len(),
        forall|i: int| 0 <= i < n ==> (a[i] == k <==> b[i] == k),
    ensures
        key_pos(a, k, n) == key_pos(b, k, n),
    decreases n,
{
    if n > 0 {
        lemma_key_pos_same(a, b, k, n - 1);
    }
}

pub proof fn lemma_index_of<V>(s: Seq<(Seq<char>, V)>, k: Seq<char>)
    ensures
        -1 <= index_of(s, k) < s.len(),
        has_key(s, k) <==> exists|i: int| 0 <= i < s.len() && s[i].0 == k,
        has_key(s, k) ==> s[index_of(s, k)].0 == k,
        has_key(s, k) ==> forall|j: int| index_of(s, k) < j < s.len() ==> s[j].0 != k,
{
    let keys = keys_of(s);
    lemma_key_pos(keys, k, s.len() as int);
    assert forall|i: int| 0 <= i < s.len() implies keys[i] == s[i].0 by {}
    if !has_key(s, k) {
        assert forall|i: int| 0 <= i < s.len() implies s[i].0 != k by {
            assert(keys[i] != k);
        }
    } else {
        assert forall|j: int| index_of(s, k) < j < s.len() implies s[j].0 != k by {
            assert(keys[j] != k);
        }
    }
}

pub proof fn lemma_unique_index<V>(s: Seq<(Seq<char>, V)>, k: Seq<char>, i: int)
    requires
        keys_unique(s),
        0 <= i < s.len(),
        s[i].0 == k,
    ensures
        index_of(s, k) == i,
        get(s, k) == Some(s[i].1),
{
    lemma_index_of(s, k);
}

/// Lookups after a map insertion.
pub proof fn lemma_put<V>(s: Seq<(Seq<char>, V)>, k: Seq<char>, v: V)
    ensures
        get(put(s, k, v), k) == Some(v),
        forall|k2: Seq<char>| k2 != k ==> #[trigger] get(put(s, k, v), k2) == get(s, k2),
        forall|k2: Seq<char>| #[trigger] has_key(put(s, k, v), k2) <==> (has_key(s, k2) || k2 == k),
        keys_unique(s) ==> keys_unique(put(s, k, v)),
{
    let p = put(s, k, v);
    lemma_index_of(s, k);
    lemma_index_of(p, k);
    let ka = keys_of(s);
    let kb = keys_of(p);
    if has_key(s, k) {
        assert(kb =~= ka);
    } else {
        assert(kb =~= ka.push(k));
        lemma_key_pos_prefix(ka, kb, k, s.len() as int);
    }
    assert forall|k2: Seq<char>| k2 != k implies #[trigger] get(put(s, k, v), k2) == get(s, k2) by {
        lemma_index_of(s, k2);
        lemma_index_of(p, k2);
        if !has_key(s, k) {
            lemma_key_pos_prefix(ka, kb, k2, s.len() as int);
        }
    }
    assert forall|k2: Seq<char>| #[trigger] has_key(put(s, k, v), k2) <==> (has_key(s, k2) || k2 == k) by {
        lemma_index_of(s, k2);
        lemma_index_of(p, k2);
        if has_key(s, k2) {
            let i = choose|i: int| 0 <= i < s.len() && s[i].0 == k2;
            assert(p[i].0 == k2);
        }
        if has_key(p, k2) && k2 != k {
            let i = choose|i: int| 0 <= i < p.len() && p[i].0 == k2;
            assert(s[i].0 == k2);
        }
    }
}

/// Lookups after a map removal, for entries with unique keys.
pub proof fn lemma_without<V>(s: Seq<(Seq<char>, V)>, k: Seq<char>)
    requires
        keys_unique(s),
    ensures
        !has_key(without(s, k), k),
        forall|k2: Seq<char>| k2 != k ==> #[trigger] get(without(s, k), k2) == get(s, k2),
        forall|k2: Seq<char>| #[trigger] has_key(without(s, k), k2) <==> (has_key(s, k2) && k2 != k),
        keys_unique(without(s, k)),
{
    let r = without(s, k);
    lemma_index_of(s, k);
    let idx = index_of(s, k);
    if has_key(s, k) {
        assert(keys_unique(r));
        assert forall|k2: Seq<char>| #[trigger] has_key(r, k2) <==> (has_key(s, k2) && k2 != k) by {
            lemma_index_of(s, k2);
            lemma_index_of(r, k2);
            if has_key(s, k2) && k2 != k {
                let i = choose|i: int| 0 <= i < s.len() && s[i].0 == k2;
                if i < idx {
                    assert(r[i].0 == k2);
                } else {
                    assert(r[i - 1].0 == k2);
                }
            }
            if has_key(r, k2) {
                let i = choose|i: int| 0 <= i < r.len() && r[i].0 == k2;
                if i < idx {
                    assert(s[i].0 == k2);
                } else {
                    assert(s[i + 1].0 == k2);
                }
            }
        }
        assert forall|k2: Seq<char>| k2 != k implies #[trigger] get(r, k2) == get(s, k2) by {
            lemma_index_of(s, k2);
            lemma_index_of(r, k2);
            if has_key(s, k2) {
                let i = choose|i: int| 0 <= i < s.len() && s[i].0 == k2;
                lemma_unique_index(s, k2, i);
                if i < idx {
                    lemma_unique_index(r, k2, i);
                } else {
                    lemma_unique_index(r, k2, i - 1);
                }
            }
        }
        lemma_index_of(r, k);
    } else {
        lemma_index_of(r, k);
    }
}

pub proof fn lemma_list_view(s: Seq<NoteValue>)
    ensures
        list_view(s).len() == s.len(),
        forall|i: int| 0 <= i < s.len() ==> #[trigger] list_view(s)[i] == s[i]@,
    decreases s.len(),
{
    if s.len() > 0 {
        lemma_list_view(s.drop_last());
    }
}

pub proof fn lemma_entries_view(s: Seq<(String, NoteValue)>)
    ensures
        entries_view(s).len() == s.len(),
        forall|i: int| 0 <= i < s.len() ==> #[trigger] entries_view(s)[i] == (s[i].0@, s[i].1@),
        keys_of(entries_view(s)) == string_keys(s),
    decreases s.len(),
{
    if s.len() > 0 {
        lemma_entries_view(s.drop_last());
    }
    assert(keys_of(entries_view(s)) =~= string_keys(s));
}

/// A deep copy of a value.
pub fn duplicate(v: &NoteValue) -> (r: NoteValue)
    ensures
        r@ == v@,
    decreases v,
{
    match v {
        NoteValue::Null => NoteValue::Null,
        NoteValue::Bool(b) => NoteValue::Bool(*b),
        NoteValue::Number(t) => NoteValue::Number(t.clone()),
        NoteValue::Text(t) => NoteValue::Text(t.clone()),
        NoteValue::List(items) => NoteValue::List(duplicate_items(items)),
        NoteValue::Object(es) => NoteValue::Object(duplicate_entries(es)),
    }
}

/// A deep copy of a list of values.
pub fn duplicate_items(items: &Vec<NoteValue>) -> (r: Vec<NoteValue>)
    ensures
        list_view(r@) == list_view(items@),
    decreases items,
{
    proof {
        lemma_list_view(items@);
    }
    let mut out: Vec<NoteValue> = Vec::new();
    let mut i: usize = 0;
    while i < items.len()
        invariant
            i <= items@.len(),
            out@.len() == i,
            forall|j: int| 0 <= j < i ==> #[trigger] out@[j]@ == items@[j]@,
        decreases items@.len() - i,
    {
        out.push(duplicate(&items[i]));
        i = i + 1;
    }
    proof {
        lemma_list_view(out@);
        assert(list_view(out@) =~= list_view(items@));
    }
    out
}

/// A deep copy of a list of entries.
pub fn duplicate_entries(es: &Vec<(String, NoteValue)>) -> (r: Vec<(String, NoteValue)>)
    ensures
        entries_view(r@) == entries_view(es@),
    decreases es,
{
    let mut out: Vec<(String, NoteValue)> = Vec::new();
    let mut i: usize = 0;
    while i < es.len()
        invariant
            i <= es@.len(),
            out@.len() == i,
            forall|j: int| 0 <= j < i ==> #[trigger] out@[j].0@ == es@[j].0@ && out@[j].1@ == es@[j].1@,
        decreases es@.len() - i,
    {
        out.push((es[i].0.clone(), duplicate(&es[i].1)));
        i = i + 1;
    }
    proof {
        lemma_entries_view(out@);
        lemma_entries_view(es@);
        assert(entries_view(out@) =~= entries_view(es@));
    }
    out
}

/// Finds the position of the entry for `k`.
pub fn key_index<V>(m: &Vec<(String, V)>, k: &str) -> (r: Option<usize>)
    ensures
        (match r {
            Some(i) => i as int,
            None => -1,
        }) == key_pos(string_keys(m@), k@, m@.len() as int),
        r matches Some(i) ==> i < m@.len() && m@[i as int].0@ == k@,
{
    let ghost keys = string_keys(m@);
    let mut j: usize = m.len();
    while j > 0
        invariant
            j <= m@.len(),
            keys == string_keys(m@),
            key_pos(keys, k@, m@.len() as int) == key_pos(keys, k@, j as int),
        decreases j,
    {
        if text_eq(m[j - 1].0.as_str(), k) {
            assert(keys[j - 1] == k@);
            return Some(j - 1);
        }
        j = j - 1;
    }
    None
}

/// Inserts `v` under `k` with map semantics.
pub fn put_value(m: &mut Vec<(String, NoteValue)>, k: String, v: NoteValue)
    ensures
        entries_view(final(m)@) == put(entries_view(old(m)@), k@, v@),
{
    proof {
        lemma_entries_view(m@);
        lemma_key_pos(string_keys(m@), k@, m@.len() as int);
    }
    let ghost kv = k@;
    let ghost vv = v@;
    match key_index(m, k.as_str()) {
        Some(i) => {
            m.remove(i);
            m.insert(i, (k, v));
        },
        None => {
            m.push((k, v));
        },
    }
    proof {
        lemma_entries_view(m@);
        assert(entries_view(m@) =~= put(entries_view(old(m)@), kv, vv));
    }
}

/// Removes the entry of `k`, if any.
pub fn remove_value(m: &mut Vec<(String, NoteValue)>, k: &str)
    ensures
        entries_view(final(m)@) == without(entries_view(old(m)@), k@),
{
    proof {
        lemma_entries_view(m@);
        lemma_key_pos(string_keys(m@), k@, m@.len() as int);
    }
    match key_index(m, k) {
        Some(i) => {
            m.remove(i);
        },
        None => {},
    }
    proof {
        lemma_entries_view(m@);
        assert(entries_view(m@) =~= without(entries_view(old(m)@), k@));
    }
}

} // verus!
