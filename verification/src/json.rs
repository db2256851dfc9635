//! Unstructured JSON documents: the bodies of composed resources.
//!
//! An object is an ordered list of members; looking a key up finds its first
//! occurrence, and inserting a key replaces the value of that occurrence in
//! place or appends a new member at the end.
use vstd::prelude::*;
use vstd::std_specs::cmp::PartialEqSpecImpl;

verus! {

broadcast use vstd::std_specs::vec::group_vec_axioms;

/// A JSON value. A number is held by its literal text (for instance `3`).
#[derive(Debug)]
pub enum Json {
    Null,
    Bool(bool),
    Number(String),
    Str(String),
    Array(Vec<Json>),
    Object(JsonMap),
}

/// The members of a JSON object, in order; no key occurs twice.
#[derive(Debug)]
pub struct JsonMap {
    entries: Vec<(String, Json)>,
}

/// The mathematical value of a JSON document.
pub enum JsonView {
    Null,
    Bool(bool),
    Number(Seq<char>),
    Str(Seq<char>),
    Array(Seq<JsonView>),
    Object(Seq<(Seq<char>, JsonView)>),
}

impl Json {
    pub open spec fn view(&self) -> JsonView
        decreases self,
    {
        match self {
            Json::Null => JsonView::Null,
            Json::Bool(b) => JsonView::Bool(*b),
            Json::Number(n) => JsonView::Number(n@),
            Json::Str(s) => JsonView::Str(s@),
            Json::Array(v) => JsonView::Array(
                Seq::new(
                    v.len() as nat,
                    |i: int|
                        if 0 <= i < v.len() {
                            v[i].view()
                        } else {
                            JsonView::Null
                        },
                ),
            ),
            Json::Object(m) => JsonView::Object(m.view()),
        }
    }
}

impl JsonMap {
    pub closed spec fn view(&self) -> Seq<(Seq<char>, JsonView)>
        decreases self,
    {
        Seq::new(
            self.entries.len() as nat,
            |i: int|
                if 0 <= i < self.entries.len() {
                    (self.entries[i].0@, self.entries[i].1.view())
                } else {
                    (Seq::empty(), JsonView::Null)
                },
        )
    }
}

/// The views of a sequence of JSON values.
pub open spec fn views(s: Seq<Json>) -> Seq<JsonView> {
    Seq::new(s.len(), |i: int| s[i]@)
}

/// The view of an array made of the given items.
pub proof fn lemma_array_view(v: Vec<Json>)
    ensures
        Json::Array(v)@ == JsonView::Array(views(v@)),
{
    let j = Json::Array(v);
    let s = j@->Array_0;
    assert(s =~= views(v@));
}

// ---------------------------------------------------------------------------
// Members of an object, as a mathematical sequence.
// ---------------------------------------------------------------------------
/// `i` is the first position of key `k` among the members `m`.
pub open spec fn is_first_key(m: Seq<(Seq<char>, JsonView)>, k: Seq<char>, i: int) -> bool {
    &&& 0 <= i < m.len()
    &&& m[i].0 == k
    &&& forall|j: int| 0 <= j < i ==> m[j].0 != k
}

/// The first position of key `k` among the members `m`, or -1 when it is absent.
pub open spec fn key_index(m: Seq<(Seq<char>, JsonView)>, k: Seq<char>) -> int {
    if exists|i: int| is_first_key(m, k, i) {
        choose|i: int| is_first_key(m, k, i)
    } else {
        -1
    }
}

/// `k` is the key of some member of `m`.
pub open spec fn has_key(m: Seq<(Seq<char>, JsonView)>, k: Seq<char>) -> bool {
    exists|i: int| 0 <= i < m.len() && m[i].0 == k
}

/// The value that key `k` finds among the members `m`.
pub open spec fn lookup(m: Seq<(Seq<char>, JsonView)>, k: Seq<char>) -> Option<JsonView> {
    if key_index(m, k) >= 0 {
        Some(m[key_index(m, k)].1)
    } else {
        None
    }
}

/// Setting key `k` to `v`: the first member with that key takes the new value
/// in place; without one, the member is appended.
pub open spec fn members_insert(m: Seq<(Seq<char>, JsonView)>, k: Seq<char>, v: JsonView) -> Seq<
    (Seq<char>, JsonView),
> {
    if key_index(m, k) >= 0 {
        m.update(key_index(m, k), (k, v))
    } else {
        m.push((k, v))
    }
}

/// Setting each member of `s` in turn, first to last.
pub open spec fn members_insert_all(
    m: Seq<(Seq<char>, JsonView)>,
    s: Seq<(Seq<char>, JsonView)>,
) -> Seq<(Seq<char>, JsonView)>
    decreases s.len(),
{
    if s.len() == 0 {
        m
    } else {
        let prefix = s.subrange(0, s.len() - 1);
        let last = s[s.len() - 1];
        members_insert(members_insert_all(m, prefix), last.0, last.1)
    }
}

/// No key occurs twice among the members `m`.
pub open spec fn keys_distinct(m: Seq<(Seq<char>, JsonView)>) -> bool {
    forall|i: int, j: int| 0 <= i < m.len() && 0 <= j < m.len() && i != j ==> m[i].0 != m[j].0
}

/// Every object in the document, at any depth, has distinct keys.
pub open spec fn keys_distinct_everywhere(j: JsonView) -> bool
    decreases j,
{
    match j {
        JsonView::Array(a) => items_keys_distinct_everywhere(a),
        JsonView::Object(m) => keys_distinct(m) && members_keys_distinct_everywhere(m),
        _ => true,
    }
}

/// Every object in each of the items, at any depth, has distinct keys.
pub open spec fn items_keys_distinct_everywhere(a: Seq<JsonView>) -> bool
    decreases a,
{
    if a.len() == 0 {
        true
    } else {
        items_keys_distinct_everywhere(a.subrange(0, a.len() - 1)) && keys_distinct_everywhere(
            a[a.len() - 1],
        )
    }
}

/// Every object in each member's value, at any depth, has distinct keys.
pub open spec fn members_keys_distinct_everywhere(m: Seq<(Seq<char>, JsonView)>) -> bool
    decreases m,
{
    if m.len() == 0 {
        true
    } else {
        members_keys_distinct_everywhere(m.subrange(0, m.len() - 1)) && keys_distinct_everywhere(
            m[m.len() - 1].1,
        )
    }
}

/// Each member's value of such members has distinct keys everywhere.
proof fn lemma_members_keys_distinct_everywhere(m: Seq<(Seq<char>, JsonView)>, i: int)
    requires
        members_keys_distinct_everywhere(m),
        0 <= i < m.len(),
    ensures
        keys_distinct_everywhere(m[i].1),
    decreases m.len(),
{
    if i < m.len() - 1 {
        let prefix = m.subrange(0, m.len() - 1);
        lemma_members_keys_distinct_everywhere(prefix, i);
        assert(prefix[i] == m[i]);
    }
}

/// Items that each have distinct keys everywhere.
proof fn lemma_items_keys_distinct_everywhere_from_each(a: Seq<JsonView>)
    requires
        forall|i: int| 0 <= i < a.len() ==> #[trigger] keys_distinct_everywhere(a[i]),
    ensures
        items_keys_distinct_everywhere(a),
    decreases a.len(),
{
    if a.len() > 0 {
        let prefix = a.subrange(0, a.len() - 1);
        assert forall|i: int| 0 <= i < prefix.len() implies #[trigger] keys_distinct_everywhere(
            prefix[i],
        ) by {
            assert(prefix[i] == a[i]);
        }
        lemma_items_keys_distinct_everywhere_from_each(prefix);
        assert(keys_distinct_everywhere(a[a.len() - 1]));
    }
}

/// Members whose values each have distinct keys everywhere.
proof fn lemma_members_keys_distinct_everywhere_from_each(m: Seq<(Seq<char>, JsonView)>)
    requires
        forall|i: int| 0 <= i < m.len() ==> #[trigger] keys_distinct_everywhere(m[i].1),
    ensures
        members_keys_distinct_everywhere(m),
    decreases m.len(),
{
    if m.len() > 0 {
        let prefix = m.subrange(0, m.len() - 1);
        assert forall|i: int| 0 <= i < prefix.len() implies #[trigger] keys_distinct_everywhere(
            prefix[i].1,
        ) by {
            assert(prefix[i] == m[i]);
        }
        lemma_members_keys_distinct_everywhere_from_each(prefix);
        assert(keys_distinct_everywhere(m[m.len() - 1].1));
    }
}

/// Recursive merge of `overlay` into `base`: where both are objects, each
/// member of the overlay, first to last, is merged into the base member of the
/// same key, or appended when the base has none; otherwise the overlay wins.
pub open spec fn merge(base: JsonView, overlay: JsonView) -> JsonView
    decreases overlay,
{
    match base {
        JsonView::Object(b) => match overlay {
            JsonView::Object(o) => JsonView::Object(merge_members(b, o)),
            _ => overlay,
        },
        _ => overlay,
    }
}

/// Merging the overlay members `o`, first to last, into the base members `b`.
pub open spec fn merge_members(
    b: Seq<(Seq<char>, JsonView)>,
    o: Seq<(Seq<char>, JsonView)>,
) -> Seq<(Seq<char>, JsonView)>
    decreases o,
{
    if o.len() == 0 {
        b
    } else {
        let prev = merge_members(b, o.subrange(0, o.len() - 1));
        let last = o[o.len() - 1];
        let i = key_index(prev, last.0);
        if i >= 0 {
            prev.update(i, (last.0, merge(prev[i].1, last.1)))
        } else {
            prev.push(last)
        }
    }
}

/// Merging one overlay member `(k, v)` into the members `m`.
pub open spec fn merge_member(m: Seq<(Seq<char>, JsonView)>, k: Seq<char>, v: JsonView) -> Seq<
    (Seq<char>, JsonView),
>
{
    if key_index(m, k) >= 0 {
        m.update(key_index(m, k), (k, merge(m[key_index(m, k)].1, v)))
    } else {
        m.push((k, v))
    }
}

// ---------------------------------------------------------------------------
// Facts about first positions.
// ---------------------------------------------------------------------------
proof fn lemma_first_exists(m: Seq<(Seq<char>, JsonView)>, k: Seq<char>, j: int)
    requires
        0 <= j < m.len(),
        m[j].0 == k,
    ensures
        exists|i: int| is_first_key(m, k, i),
    decreases j,
{
    if exists|j2: int| 0 <= j2 < j && m[j2].0 == k {
        let j2 = choose|j2: int| 0 <= j2 < j && m[j2].0 == k;
        lemma_first_exists(m, k, j2);
    } else {
        assert(is_first_key(m, k, j));
    }
}

/// What `key_index` gives: the first position of the key, or -1 exactly when
/// no member has that key.
pub proof fn lemma_key_index(m: Seq<(Seq<char>, JsonView)>, k: Seq<char>)
    ensures
        key_index(m, k) >= 0 ==> is_first_key(m, k, key_index(m, k)),
        key_index(m, k) < 0 ==> key_index(m, k) == -1,
        key_index(m, k) >= 0 <==> has_key(m, k),
        forall|i: int| is_first_key(m, k, i) ==> key_index(m, k) == i,
{
    if has_key(m, k) {
        let j = choose|j: int| 0 <= j < m.len() && m[j].0 == k;
        lemma_first_exists(m, k, j);
    }
    assert forall|i: int| is_first_key(m, k, i) implies key_index(m, k) == i by {
        let c = choose|c: int| is_first_key(m, k, c);
        if c < i {
            assert(m[c].0 == k);
        } else if i < c {
            assert(m[i].0 == k);
        }
    }
}

/// Setting a key that no member has appends the member.
pub proof fn lemma_insert_absent_key(m: Seq<(Seq<char>, JsonView)>, k: Seq<char>, v: JsonView)
    requires
        !has_key(m, k),
    ensures
        members_insert(m, k, v) == m.push((k, v)),
        forall|k2: Seq<char>| #[trigger] has_key(m.push((k, v)), k2) <==> (has_key(m, k2) || k2 == k),
{
    lemma_key_index(m, k);
    assert forall|k2: Seq<char>| #[trigger] has_key(m.push((k, v)), k2) <==> (has_key(m, k2) || k2 == k) by {
        let r = m.push((k, v));
        if has_key(r, k2) {
            let j = choose|j: int| 0 <= j < r.len() && r[j].0 == k2;
            if j < m.len() {
                assert(m[j].0 == k2);
            }
        }
        if has_key(m, k2) {
            let j = choose|j: int| 0 <= j < m.len() && m[j].0 == k2;
            assert(r[j].0 == k2);
        }
        if k2 == k {
            assert(r[m.len() as int].0 == k2);
        }
    }
}

// ---------------------------------------------------------------------------
// Laws of members.
// ---------------------------------------------------------------------------
/// What a key finds after a member is set: the new value for that key, what
/// it found before for any other.
pub broadcast proof fn lemma_lookup_members_insert(
    m: Seq<(Seq<char>, JsonView)>,
    k: Seq<char>,
    v: JsonView,
    q: Seq<char>,
)
    ensures
        #[trigger] lookup(members_insert(m, k, v), q) == (if q == k {
            Some(v)
        } else {
            lookup(m, q)
        }),
{
    law_insert_then_lookup(m, k, v);
}

/// No key finds anything among no members.
pub broadcast proof fn lemma_lookup_empty(q: Seq<char>)
    ensures
        #[trigger] lookup(Seq::<(Seq<char>, JsonView)>::empty(), q) is None,
{
    lemma_key_index(Seq::<(Seq<char>, JsonView)>::empty(), q);
}

/// The value of key `k` in `j`, when `j` is an object that has it.
pub open spec fn child(j: Option<JsonView>, k: Seq<char>) -> Option<JsonView> {
    match j {
        Some(JsonView::Object(m)) => lookup(m, k),
        _ => None,
    }
}

/// After setting key `k` to `v`, `k` finds `v`, and every other key finds what
/// it found before.
pub proof fn law_insert_then_lookup(m: Seq<(Seq<char>, JsonView)>, k: Seq<char>, v: JsonView)
    ensures
        lookup(members_insert(m, k, v), k) == Some(v),
        forall|k2: Seq<char>| k2 != k ==> lookup(members_insert(m, k, v), k2) == lookup(m, k2),
{
    let r = members_insert(m, k, v);
    lemma_key_index(m, k);
    lemma_key_index(r, k);
    if key_index(m, k) >= 0 {
        let i = key_index(m, k);
        assert(is_first_key(r, k, i));
    } else {
        assert(is_first_key(r, k, m.len() as int));
    }
    assert forall|k2: Seq<char>| k2 != k implies lookup(r, k2) == lookup(m, k2) by {
        lemma_key_index(m, k2);
        lemma_key_index(r, k2);
        if key_index(m, k2) >= 0 {
            assert(is_first_key(r, k2, key_index(m, k2)));
        } else {
            assert(!has_key(r, k2)) by {
                if has_key(r, k2) {
                    let j = choose|j: int| 0 <= j < r.len() && r[j].0 == k2;
                    assert(m[j].0 == k2);
                }
            }
        }
    }
}

/// Setting a key keeps the keys distinct.
pub proof fn law_insert_keeps_keys_distinct(
    m: Seq<(Seq<char>, JsonView)>,
    k: Seq<char>,
    v: JsonView,
)
    requires
        keys_distinct(m),
    ensures
        keys_distinct(members_insert(m, k, v)),
{
    lemma_key_index(m, k);
    let r = members_insert(m, k, v);
    if key_index(m, k) < 0 {
        assert forall|i: int, j: int|
            0 <= i < r.len() && 0 <= j < r.len() && i != j implies r[i].0 != r[j].0 by {
            if i == m.len() {
                assert(m[j].0 != k);
            } else if j == m.len() {
                assert(m[i].0 != k);
            }
        }
    }
}

/// The keys that setting several members leaves: those of `m` and those of `s`.
pub proof fn law_insert_all_keys(m: Seq<(Seq<char>, JsonView)>, s: Seq<(Seq<char>, JsonView)>)
    ensures
        forall|k: Seq<char>|
            has_key(members_insert_all(m, s), k) <==> (has_key(m, k) || has_key(s, k)),
    decreases s.len(),
{
    if s.len() > 0 {
        let prefix = s.subrange(0, s.len() - 1);
        let last = s[s.len() - 1];
        law_insert_all_keys(m, prefix);
        let p = members_insert_all(m, prefix);
        lemma_key_index(p, last.0);
        let r = members_insert(p, last.0, last.1);
        assert forall|k: Seq<char>| has_key(r, k) <==> (has_key(m, k) || has_key(s, k)) by {
            if has_key(r, k) {
                let j = choose|j: int| 0 <= j < r.len() && r[j].0 == k;
                if k != last.0 {
                    assert(p[j].0 == k);
                    assert(has_key(p, k));
                    if has_key(prefix, k) {
                        let j2 = choose|j2: int| 0 <= j2 < prefix.len() && prefix[j2].0 == k;
                        assert(s[j2].0 == k);
                    }
                } else {
                    assert(s[s.len() - 1].0 == k);
                }
            }
            if has_key(m, k) || has_key(s, k) {
                if k == last.0 {
                    lemma_key_index(r, k);
                    law_insert_then_lookup(p, last.0, last.1);
                } else {
                    if has_key(s, k) {
                        let j2 = choose|j2: int| 0 <= j2 < s.len() && s[j2].0 == k;
                        assert(prefix[j2].0 == k);
                    }
                    assert(has_key(p, k));
                    let j = choose|j: int| 0 <= j < p.len() && p[j].0 == k;
                    assert(r[j].0 == k);
                }
            }
        }
    }
}

/// Merging an overlay that is not an object gives the overlay.
pub proof fn law_merge_scalar_overlay_wins(base: JsonView, overlay: JsonView)
    requires
        !(overlay is Object),
    ensures
        merge(base, overlay) == overlay,
{
}

/// Merging into a base that is not an object gives the overlay.
pub proof fn law_merge_into_scalar_is_overlay(base: JsonView, overlay: JsonView)
    requires
        !(base is Object),
    ensures
        merge(base, overlay) == overlay,
{
}

/// Merging an empty object leaves an object base unchanged.
pub proof fn law_merge_empty_object_is_identity(base: JsonView)
    requires
        base is Object,
    ensures
        merge(base, JsonView::Object(Seq::empty())) == base,
{
}

/// Merging two objects keeps every key of the base and adds every key of the
/// overlay, and no other.
pub proof fn law_merge_keys(b: Seq<(Seq<char>, JsonView)>, o: Seq<(Seq<char>, JsonView)>)
    ensures
        forall|k: Seq<char>| has_key(merge_members(b, o), k) <==> (has_key(b, k) || has_key(o, k)),
    decreases o.len(),
{
    if o.len() > 0 {
        let prefix = o.subrange(0, o.len() - 1);
        let last = o[o.len() - 1];
        law_merge_keys(b, prefix);
        let p = merge_members(b, prefix);
        lemma_key_index(p, last.0);
        let i = key_index(p, last.0);
        let r = merge_members(b, o);
        assert forall|k: Seq<char>| has_key(r, k) <==> (has_key(b, k) || has_key(o, k)) by {
            if has_key(r, k) {
                let j = choose|j: int| 0 <= j < r.len() && r[j].0 == k;
                if k != last.0 {
                    assert(p[j].0 == k);
                    assert(has_key(p, k));
                    if has_key(prefix, k) {
                        let j2 = choose|j2: int| 0 <= j2 < prefix.len() && prefix[j2].0 == k;
                        assert(o[j2].0 == k);
                    }
                } else {
                    assert(o[o.len() - 1].0 == k);
                }
            }
            if has_key(b, k) || has_key(o, k) {
                if k == last.0 {
                    if i >= 0 {
                        assert(r[i].0 == k);
                    } else {
                        assert(r[p.len() as int].0 == k);
                    }
                } else {
                    if has_key(o, k) {
                        let j2 = choose|j2: int| 0 <= j2 < o.len() && o[j2].0 == k;
                        assert(j2 < o.len() - 1);
                        assert(prefix[j2].0 == k);
                        assert(has_key(prefix, k));
                    }
                    assert(has_key(p, k));
                    let j = choose|j: int| 0 <= j < p.len() && p[j].0 == k;
                    assert(r[j].0 == k);
                }
            }
        }
    }
}

/// Replacing a member by one of the same key changes no other key's value.
proof fn lemma_lookup_update_other(
    m: Seq<(Seq<char>, JsonView)>,
    i: int,
    kv: (Seq<char>, JsonView),
    k: Seq<char>,
)
    requires
        0 <= i < m.len(),
        m[i].0 == kv.0,
        k != kv.0,
    ensures
        lookup(m.update(i, kv), k) == lookup(m, k),
{
    let r = m.update(i, kv);
    lemma_key_index(m, k);
    lemma_key_index(r, k);
    if key_index(m, k) >= 0 {
        assert(is_first_key(r, k, key_index(m, k)));
    } else if has_key(r, k) {
        let j = choose|j: int| 0 <= j < r.len() && r[j].0 == k;
        assert(m[j].0 == k);
    }
}

/// Appending a member of another key changes no value of `k`.
proof fn lemma_lookup_push_other(m: Seq<(Seq<char>, JsonView)>, kv: (Seq<char>, JsonView), k: Seq<char>)
    requires
        k != kv.0,
    ensures
        lookup(m.push(kv), k) == lookup(m, k),
{
    let r = m.push(kv);
    lemma_key_index(m, k);
    lemma_key_index(r, k);
    if key_index(m, k) >= 0 {
        assert(is_first_key(r, k, key_index(m, k)));
    } else if has_key(r, k) {
        let j = choose|j: int| 0 <= j < r.len() && r[j].0 == k;
        assert(m[j].0 == k);
    }
}

/// Merging two objects: a key that the overlay lacks keeps the base's value;
/// when the overlay's keys are distinct, a key of the overlay finds the merge
/// of the base's value into the overlay's, or the overlay's value when the
/// base lacks the key, and so the overlay's value outright when it is not an
/// object.
pub proof fn law_merge_lookup(
    b: Seq<(Seq<char>, JsonView)>,
    o: Seq<(Seq<char>, JsonView)>,
    k: Seq<char>,
)
    ensures
        !has_key(o, k) ==> lookup(merge_members(b, o), k) == lookup(b, k),
        keys_distinct(o) && has_key(o, k) ==> lookup(merge_members(b, o), k) == Some(
            if has_key(b, k) {
                merge(lookup(b, k)->0, lookup(o, k)->0)
            } else {
                lookup(o, k)->0
            },
        ),
        keys_distinct(o) && has_key(o, k) && !(lookup(o, k)->0 is Object) ==> lookup(
            merge_members(b, o),
            k,
        ) == lookup(o, k),
    decreases o.len(),
{
    lemma_key_index(b, k);
    lemma_key_index(o, k);
    if o.len() > 0 {
        let prefix = o.subrange(0, o.len() - 1);
        let last = o[o.len() - 1];
        let p = merge_members(b, prefix);
        let r = merge_members(b, o);
        lemma_key_index(p, last.0);
        let i = key_index(p, last.0);
        if k != last.0 {
            if i >= 0 {
                lemma_lookup_update_other(p, i, (last.0, merge(p[i].1, last.1)), k);
            } else {
                lemma_lookup_push_other(p, last, k);
            }
            lemma_prefix_lookup(o, k);
            law_merge_lookup(b, prefix, k);
        } else {
            assert(has_key(o, k)) by {
                assert(o[o.len() - 1].0 == k);
            }
            if keys_distinct(o) {
                lemma_last_lookup(o);
                assert(!has_key(prefix, k)) by {
                    if has_key(prefix, k) {
                        let j = choose|j: int| 0 <= j < prefix.len() && prefix[j].0 == k;
                        assert(o[j].0 == k);
                    }
                }
                law_merge_lookup(b, prefix, k);
                lemma_key_index(r, k);
                if i >= 0 {
                    assert(is_first_key(r, k, i));
                } else {
                    assert(is_first_key(r, k, p.len() as int));
                }
            }
        }
    } else {
        assert(!has_key(o, k));
    }
}

/// Merging overlay members that each leave their key's value as it is changes
/// nothing.
proof fn lemma_merge_members_unchanged(r: Seq<(Seq<char>, JsonView)>, o: Seq<(Seq<char>, JsonView)>)
    requires
        forall|j: int|
            0 <= j < o.len() ==> has_key(r, #[trigger] o[j].0) && merge(lookup(r, o[j].0)->0, o[j].1)
                == lookup(r, o[j].0)->0,
    ensures
        merge_members(r, o) == r,
    decreases o.len(),
{
    if o.len() > 0 {
        let prefix = o.subrange(0, o.len() - 1);
        let last = o[o.len() - 1];
        assert forall|j: int|
            0 <= j < prefix.len() implies has_key(r, #[trigger] prefix[j].0) && merge(
                lookup(r, prefix[j].0)->0,
                prefix[j].1,
            ) == lookup(r, prefix[j].0)->0 by {
            assert(prefix[j] == o[j]);
        }
        lemma_merge_members_unchanged(r, prefix);
        assert(has_key(r, o[o.len() - 1].0));
        lemma_key_index(r, last.0);
        let i = key_index(r, last.0);
        assert(r.update(i, (last.0, merge(r[i].1, last.1))) =~= r);
    }
}

/// Merging a document into itself gives it back, when every object in it has
/// distinct keys.
pub proof fn law_merge_with_itself(v: JsonView)
    requires
        keys_distinct_everywhere(v),
    ensures
        merge(v, v) == v,
    decreases v,
{
    if let JsonView::Object(m) = v {
        assert forall|j: int|
            0 <= j < m.len() implies has_key(m, #[trigger] m[j].0) && merge(
                lookup(m, m[j].0)->0,
                m[j].1,
            ) == lookup(m, m[j].0)->0 by {
            lemma_member_lookup(m, j);
            lemma_members_keys_distinct_everywhere(m, j);
            law_merge_with_itself(m[j].1);
        }
        lemma_merge_members_unchanged(m, m);
    }
}

/// Merging the same overlay twice is merging it once, when every object in
/// the overlay has distinct keys.
pub proof fn law_merge_idempotent(base: JsonView, overlay: JsonView)
    requires
        keys_distinct_everywhere(overlay),
    ensures
        merge(merge(base, overlay), overlay) == merge(base, overlay),
    decreases overlay,
{
    match overlay {
        JsonView::Object(o) => match base {
            JsonView::Object(b) => {
                let r = merge_members(b, o);
                law_merge_keys(b, o);
                assert forall|j: int|
                    0 <= j < o.len() implies has_key(r, #[trigger] o[j].0) && merge(
                        lookup(r, o[j].0)->0,
                        o[j].1,
                    ) == lookup(r, o[j].0)->0 by {
                    let k = o[j].0;
                    let v = o[j].1;
                    assert(has_key(o, k));
                    lemma_member_lookup(o, j);
                    law_merge_lookup(b, o, k);
                    lemma_members_keys_distinct_everywhere(o, j);
                    if has_key(b, k) {
                        law_merge_idempotent(lookup(b, k)->0, v);
                    } else {
                        law_merge_with_itself(v);
                    }
                }
                lemma_merge_members_unchanged(r, o);
            },
            _ => {
                law_merge_with_itself(overlay);
            },
        },
        _ => {},
    }
}

/// Dropping the last member, when its key is not `k`, changes nothing of `k`.
proof fn lemma_prefix_lookup(s: Seq<(Seq<char>, JsonView)>, k: Seq<char>)
    requires
        s.len() > 0,
        s[s.len() - 1].0 != k,
    ensures
        has_key(s.subrange(0, s.len() - 1), k) <==> has_key(s, k),
        lookup(s.subrange(0, s.len() - 1), k) == lookup(s, k),
        keys_distinct(s) ==> keys_distinct(s.subrange(0, s.len() - 1)),
{
    let prefix = s.subrange(0, s.len() - 1);
    lemma_key_index(s, k);
    lemma_key_index(prefix, k);
    if has_key(s, k) {
        let j = choose|j: int| 0 <= j < s.len() && s[j].0 == k;
        assert(j < s.len() - 1);
        assert(prefix[j].0 == k);
    }
    if has_key(prefix, k) {
        let j = choose|j: int| 0 <= j < prefix.len() && prefix[j].0 == k;
        assert(s[j].0 == k);
        let ki = key_index(prefix, k);
        assert forall|x: int| 0 <= x < ki implies s[x].0 != k by {
            assert(s[x] == prefix[x]);
        }
        assert(s[ki] == prefix[ki]);
        assert(is_first_key(s, k, ki));
    }
    if keys_distinct(s) {
        assert forall|x: int, y: int|
            0 <= x < prefix.len() && 0 <= y < prefix.len() && x != y implies prefix[x].0
            != prefix[y].0 by {
            assert(s[x] == prefix[x]);
            assert(s[y] == prefix[y]);
        }
    }
}

/// The last member of sequence with distinct keys is what its key finds.
proof fn lemma_last_lookup(s: Seq<(Seq<char>, JsonView)>)
    requires
        s.len() > 0,
        keys_distinct(s),
    ensures
        lookup(s, s[s.len() - 1].0) == Some(s[s.len() - 1].1),
{
    let k = s[s.len() - 1].0;
    assert(is_first_key(s, k, s.len() - 1));
    lemma_key_index(s, k);
}

/// In an object with distinct keys, the key of each member finds that member.
proof fn lemma_member_lookup(s: Seq<(Seq<char>, JsonView)>, j: int)
    requires
        0 <= j < s.len(),
        keys_distinct(s),
    ensures
        lookup(s, s[j].0) == Some(s[j].1),
{
    assert(is_first_key(s, s[j].0, j));
    lemma_key_index(s, s[j].0);
}

/// After setting the members of `s` (keys distinct) in turn, a key of `s`
/// finds its value in `s`, and any other key finds what it found before.
pub proof fn law_insert_all_then_lookup(
    m: Seq<(Seq<char>, JsonView)>,
    s: Seq<(Seq<char>, JsonView)>,
    k: Seq<char>,
)
    requires
        keys_distinct(s),
    ensures
        lookup(members_insert_all(m, s), k) == (if has_key(s, k) {
            lookup(s, k)
        } else {
            lookup(m, k)
        }),
    decreases s.len(),
{
    if s.len() == 0 {
        assert(!has_key(s, k));
    } else {
        let prefix = s.subrange(0, s.len() - 1);
        let last = s[s.len() - 1];
        let p = members_insert_all(m, prefix);
        law_insert_then_lookup(p, last.0, last.1);
        if k == last.0 {
            lemma_last_lookup(s);
            assert(has_key(s, k)) by {
                assert(s[s.len() - 1].0 == k);
            }
        } else {
            lemma_prefix_lookup(s, k);
            law_insert_all_then_lookup(m, prefix, k);
        }
    }
}

// ---------------------------------------------------------------------------
// Equality of documents: objects compare as maps, whatever their order.
// ---------------------------------------------------------------------------
/// `a` and `b` are the same document: scalars equal, arrays item by item,
/// objects with as many members and each key of `a` finding an equal value
/// in `b`.
pub open spec fn json_equal(a: JsonView, b: JsonView) -> bool
    decreases a,
{
    match a {
        JsonView::Null => b is Null,
        JsonView::Bool(x) => b == JsonView::Bool(x),
        JsonView::Number(x) => b == JsonView::Number(x),
        JsonView::Str(x) => b == JsonView::Str(x),
        JsonView::Array(x) => b is Array && x.len() == b->Array_0.len() && items_equal(
            x,
            b->Array_0,
        ),
        JsonView::Object(x) => b is Object && x.len() == b->Object_0.len() && members_equal(
            x,
            b->Object_0,
        ),
    }
}

/// Each item of `x` is the same document as the item of `y` at its position.
pub open spec fn items_equal(x: Seq<JsonView>, y: Seq<JsonView>) -> bool
    decreases x,
{
    if x.len() == 0 {
        true
    } else {
        items_equal(x.subrange(0, x.len() - 1), y) && json_equal(x[x.len() - 1], y[x.len() - 1])
    }
}

/// Each member's key of `x` finds, in `y`, the same document as its value.
pub open spec fn members_equal(x: Seq<(Seq<char>, JsonView)>, y: Seq<(Seq<char>, JsonView)>) -> bool
    decreases x,
{
    if x.len() == 0 {
        true
    } else {
        &&& members_equal(x.subrange(0, x.len() - 1), y)
        &&& lookup(y, x[x.len() - 1].0) is Some
        &&& json_equal(x[x.len() - 1].1, lookup(y, x[x.len() - 1].0)->0)
    }
}

// ---------------------------------------------------------------------------
// Objects written out member by member, each member set in turn.
// ---------------------------------------------------------------------------
pub open spec fn members1(k1: Seq<char>, v1: JsonView) -> Seq<(Seq<char>, JsonView)> {
    members_insert(Seq::empty(), k1, v1)
}

pub open spec fn members2(
    k1: Seq<char>, v1: JsonView,
    k2: Seq<char>, v2: JsonView,
) -> Seq<(Seq<char>, JsonView)> {
    members_insert(members1(k1, v1), k2, v2)
}

pub open spec fn members3(
    k1: Seq<char>, v1: JsonView,
    k2: Seq<char>, v2: JsonView,
    k3: Seq<char>, v3: JsonView,
) -> Seq<(Seq<char>, JsonView)> {
    members_insert(members2(k1, v1, k2, v2), k3, v3)
}

pub open spec fn members4(
    k1: Seq<char>, v1: JsonView,
    k2: Seq<char>, v2: JsonView,
    k3: Seq<char>, v3: JsonView,
    k4: Seq<char>, v4: JsonView,
) -> Seq<(Seq<char>, JsonView)> {
    members_insert(members3(k1, v1, k2, v2, k3, v3), k4, v4)
}

pub open spec fn members7(
    k1: Seq<char>, v1: JsonView,
    k2: Seq<char>, v2: JsonView,
    k3: Seq<char>, v3: JsonView,
    k4: Seq<char>, v4: JsonView,
    k5: Seq<char>, v5: JsonView,
    k6: Seq<char>, v6: JsonView,
    k7: Seq<char>, v7: JsonView,
) -> Seq<(Seq<char>, JsonView)> {
    members_insert(
        members_insert(
            members_insert(members4(k1, v1, k2, v2, k3, v3, k4, v4), k5, v5),
            k6,
            v6,
        ),
        k7,
        v7,
    )
}

// ---------------------------------------------------------------------------
// Executable operations.
// ---------------------------------------------------------------------------
impl Json {
    /// A JSON string with the given text.
    pub fn text(s: &str) -> (r: Json)
        ensures
            r@ == JsonView::Str(s@),
    {
        Json::Str(s.to_owned())
    }

    /// A JSON array of the given items.
    pub fn array(items: Vec<Json>) -> (r: Json)
        ensures
            r@ == JsonView::Array(views(items@)),
    {
        proof {
            lemma_array_view(items);
        }
        Json::Array(items)
    }

    /// An empty JSON object.
    pub fn empty_object() -> (r: Json)
        ensures
            r@ == JsonView::Object(Seq::empty()),
    {
        Json::Object(JsonMap::new())
    }

    /// Whether this value is `null`.
    pub fn is_null(&self) -> (r: bool)
        ensures
            r == (self@ is Null),
    {
        match self {
            Json::Null => true,
            _ => false,
        }
    }

    /// A copy of this value.
    #[verifier::loop_isolation(false)]
    pub fn clone_json(&self) -> (r: Json)
        ensures
            r@ == self@,
            keys_distinct_everywhere(self@),
        decreases self,
    {
        match self {
            Json::Null => Json::Null,
            Json::Bool(b) => Json::Bool(*b),
            Json::Number(n) => Json::Number(n.clone()),
            Json::Str(s) => Json::Str(s.clone()),
            Json::Array(v) => {
                let mut out: Vec<Json> = Vec::new();
                let n = v.len();
                for i in 0..n
                    invariant
                        n == v.len(),
                        out.len() == i,
                        forall|j: int| 0 <= j < i ==> #[trigger] out@[j]@ == v@[j]@,
                        forall|j: int| 0 <= j < i ==> keys_distinct_everywhere(#[trigger] v@[j]@),
                {
                    proof {
                        assert(decreases_to!(self => v[i as int]));
                    }
                    out.push(v[i].clone_json());
                }
                proof {
                    lemma_array_view(out);
                    lemma_array_view(*v);
                    assert(views(out@) =~= views(v@));
                    lemma_items_keys_distinct_everywhere_from_each(views(v@));
                }
                Json::Array(out)
            },
            Json::Object(m) => Json::Object(m.clone_map()),
        }
    }
}

impl Json {
    /// Whether the two documents are the same: objects compare as maps.
    #[verifier::loop_isolation(false)]
    pub fn json_eq(&self, other: &Json) -> (r: bool)
        ensures
            r == json_equal(self@, other@),
        decreases self,
    {
        match self {
            Json::Null => match other {
                Json::Null => true,
                _ => false,
            },
            Json::Bool(x) => match other {
                Json::Bool(y) => *x == *y,
                _ => false,
            },
            Json::Number(x) => match other {
                Json::Number(y) => *x == *y,
                _ => false,
            },
            Json::Str(x) => match other {
                Json::Str(y) => *x == *y,
                _ => false,
            },
            Json::Array(x) => match other {
                Json::Array(y) => {
                    proof {
                        lemma_array_view(*x);
                        lemma_array_view(*y);
                    }
                    let n = x.len();
                    if n != y.len() {
                        return false;
                    }
                    let mut eq = true;
                    for i in 0..n
                        invariant
                            n == x.len(),
                            n == y.len(),
                            eq == items_equal(views(x@).subrange(0, i as int), views(y@)),
                    {
                        proof {
                            assert(decreases_to!(self => x[i as int]));
                            assert(views(x@).subrange(0, i + 1).subrange(0, i as int) =~= views(
                                x@,
                            ).subrange(0, i as int));
                        }
                        eq = eq && x[i].json_eq(&y[i]);
                    }
                    assert(views(x@).subrange(0, n as int) =~= views(x@));
                    eq
                },
                _ => false,
            },
            Json::Object(x) => match other {
                Json::Object(y) => x.map_eq(y),
                _ => false,
            },
        }
    }
}

impl JsonMap {
    /// No key occurs twice among the members.
    #[verifier::type_invariant]
    spec fn keys_are_distinct(self) -> bool {
        keys_distinct(self@)
    }

    /// An object with no members.
    pub fn new() -> (r: JsonMap)
        ensures
            r@ == Seq::<(Seq<char>, JsonView)>::empty(),
            keys_distinct(r@),
    {
        let r = JsonMap { entries: Vec::new() };
        assert(r@ =~= Seq::<(Seq<char>, JsonView)>::empty());
        r
    }

    /// The number of members.
    pub fn len(&self) -> (r: usize)
        ensures
            r == self@.len(),
    {
        self.entries.len()
    }

    /// The member at position `i`, if there is one.
    pub fn get_index(&self, i: usize) -> (r: Option<(&String, &Json)>)
        ensures
            i < self@.len() ==> (r matches Some((k, v)) && k@ == self@[i as int].0 && v@ == self@[
                i as int
            ].1),
            i >= self@.len() ==> r is None,
    {
        if i < self.entries.len() {
            let e = &self.entries[i];
            Some((&e.0, &e.1))
        } else {
            None
        }
    }

    /// The first position of `key`.
    fn find(&self, key: &String) -> (r: Option<usize>)
        ensures
            match r {
                Some(i) => key_index(self@, key@) == i,
                None => key_index(self@, key@) == -1,
            },
    {
        let n = self.entries.len();
        proof {
            lemma_key_index(self@, key@);
        }
        for i in 0..n
            invariant
                n == self.entries.len(),
                n == self@.len(),
                forall|j: int| 0 <= j < i ==> self@[j].0 != key@,
        {
            if self.entries[i].0 == *key {
                assert(self@[i as int].0 == key@);
                assert(is_first_key(self@, key@, i as int));
                return Some(i);
            }
            assert(self@[i as int].0 != key@);
        }
        assert(!has_key(self@, key@));
        None
    }

    /// The value of `key`, if the object has one.
    pub fn get(&self, key: &str) -> (r: Option<&Json>)
        ensures
            match r {
                Some(v) => lookup(self@, key@) == Some(v@),
                None => lookup(self@, key@) is None,
            },
    {
        let k = key.to_owned();
        match self.find(&k) {
            Some(i) => Some(&self.entries[i].1),
            None => None,
        }
    }

    /// Sets `key` to `value`, in place when the key is present, else at the end.
    pub fn insert(&mut self, key: String, value: Json)
        ensures
            final(self)@ == members_insert(old(self)@, key@, value@),
            keys_distinct(final(self)@),
    {
        proof {
            use_type_invariant(&*self);
            law_insert_keeps_keys_distinct(self@, key@, value@);
        }
        let idx = self.find(&key);
        let ghost before = self@;
        let mut e: Vec<(String, Json)> = Vec::new();
        std::mem::swap(&mut e, &mut self.entries);
        assert(JsonMap { entries: e }@ =~= before);
        match idx {
            Some(i) => {
                e.set(i, (key, value));
            },
            None => {
                e.push((key, value));
            },
        }
        assert(JsonMap { entries: e }@ =~= members_insert(before, key@, value@));
        *self = JsonMap { entries: e };
    }

    /// This object with `key` set to `value`, in place when the key is
    /// present, else at the end.
    pub fn with(self, key: &str, value: Json) -> (r: JsonMap)
        ensures
            r@ == members_insert(self@, key@, value@),
            keys_distinct(r@),
    {
        let mut s = self;
        s.insert(key.to_owned(), value);
        s
    }

    /// Replaces the value at position `j`, keeping its key; gives back the
    /// value that was there.
    fn swap_value(&mut self, j: usize, value: Json) -> (prev: Json)
        requires
            j < old(self)@.len(),
        ensures
            prev@ == old(self)@[j as int].1,
            final(self)@ == old(self)@.update(j as int, (old(self)@[j as int].0, value@)),
    {
        proof {
            use_type_invariant(&*self);
        }
        let ghost before = self@;
        let mut e: Vec<(String, Json)> = Vec::new();
        std::mem::swap(&mut e, &mut self.entries);
        assert(JsonMap { entries: e }@ =~= before);
        let (k, prev) = e.remove(j);
        e.insert(j, (k, value));
        let ghost after = before.update(j as int, (before[j as int].0, value@));
        assert(JsonMap { entries: e }@ =~= after);
        assert(keys_distinct(after)) by {
            assert forall|x: int, y: int|
                0 <= x < after.len() && 0 <= y < after.len() && x != y implies after[x].0
                != after[y].0 by {
                assert(after[x].0 == before[x].0);
                assert(after[y].0 == before[y].0);
            }
        }
        *self = JsonMap { entries: e };
        prev
    }

    /// Sets each member of `other` in turn, first to last.
    pub fn insert_all(&mut self, other: &JsonMap)
        ensures
            final(self)@ == members_insert_all(old(self)@, other@),
            keys_distinct(final(self)@),
            keys_distinct(other@),
    {
        proof {
            use_type_invariant(&*self);
            use_type_invariant(other);
        }
        let n = other.entries.len();
        for i in 0..n
            invariant
                n == other@.len(),
                self@ == members_insert_all(old(self)@, other@.subrange(0, i as int)),
                keys_distinct(self@),
        {
            let k = other.entries[i].0.clone();
            let v = other.entries[i].1.clone_json();
            self.insert(k, v);
            assert(other@.subrange(0, i + 1).subrange(0, i as int) =~= other@.subrange(0, i as int));
        }
        assert(other@.subrange(0, n as int) =~= other@);
    }

    /// Whether the two objects have the same members, whatever their order.
    #[verifier::loop_isolation(false)]
    pub fn map_eq(&self, other: &JsonMap) -> (r: bool)
        ensures
            r == (self@.len() == other@.len() && members_equal(self@, other@)),
        decreases self,
    {
        let n = self.entries.len();
        if n != other.entries.len() {
            return false;
        }
        let mut eq = true;
        for i in 0..n
            invariant
                n == self.entries.len(),
                n == self@.len(),
                eq == members_equal(self@.subrange(0, i as int), other@),
        {
            proof {
                assert(decreases_to!(self => self.entries[i as int].1));
                assert(self@.subrange(0, i + 1).subrange(0, i as int) =~= self@.subrange(
                    0,
                    i as int,
                ));
            }
            if eq {
                match other.get(self.entries[i].0.as_str()) {
                    Some(v) => {
                        eq = self.entries[i].1.json_eq(v);
                    },
                    None => {
                        eq = false;
                    },
                }
            }
        }
        assert(self@.subrange(0, n as int) =~= self@);
        eq
    }

    /// A copy of this object.
    #[verifier::loop_isolation(false)]
    pub fn clone_map(&self) -> (r: JsonMap)
        ensures
            r@ == self@,
            keys_distinct(r@),
            members_keys_distinct_everywhere(self@),
        decreases self,
    {
        proof {
            use_type_invariant(self);
        }
        let mut out: Vec<(String, Json)> = Vec::new();
        let n = self.entries.len();
        for i in 0..n
            invariant
                n == self.entries.len(),
                out.len() == i,
                forall|j: int|
                    0 <= j < i ==> (#[trigger] out@[j]).0@ == self.entries@[j].0@ && out@[j].1@
                        == self.entries@[j].1@,
                forall|j: int| 0 <= j < i ==> keys_distinct_everywhere(#[trigger] self@[j].1),
        {
            proof {
                assert(decreases_to!(self => self.entries[i as int].1));
            }
            let k = self.entries[i].0.clone();
            let v = self.entries[i].1.clone_json();
            out.push((k, v));
        }
        proof {
            lemma_members_keys_distinct_everywhere_from_each(self@);
        }
        assert(JsonMap { entries: out }@ =~= self@);
        JsonMap { entries: out }
    }
}

impl PartialEq for Json {
    fn eq(&self, other: &Json) -> (r: bool) {
        self.json_eq(other)
    }
}

impl PartialEqSpecImpl for Json {
    open spec fn obeys_eq_spec() -> bool {
        true
    }

    open spec fn eq_spec(&self, other: &Json) -> bool {
        json_equal(self@, other@)
    }
}

impl PartialEq for JsonMap {
    fn eq(&self, other: &JsonMap) -> (r: bool) {
        self.map_eq(other)
    }
}

impl PartialEqSpecImpl for JsonMap {
    open spec fn obeys_eq_spec() -> bool {
        true
    }

    open spec fn eq_spec(&self, other: &JsonMap) -> bool {
        self@.len() == other@.len() && members_equal(self@, other@)
    }
}

impl Clone for Json {
    fn clone(&self) -> (r: Json)
        ensures
            r@ == self@,
    {
        self.clone_json()
    }
}

impl Clone for JsonMap {
    fn clone(&self) -> (r: JsonMap)
        ensures
            r@ == self@,
    {
        self.clone_map()
    }
}

impl Default for Json {
    fn default() -> (r: Json)
        ensures
            r@ is Null,
    {
        Json::Null
    }
}

impl Default for JsonMap {
    fn default() -> (r: JsonMap)
        ensures
            r@ == Seq::<(Seq<char>, JsonView)>::empty(),
    {
        JsonMap::new()
    }
}

/// Merges `overlay` into `base`: where both are objects each overlay member is
/// merged into the base member of its key, or appended; otherwise the overlay
/// replaces the base.
pub fn merge_objects(base: &mut Json, overlay: &Json)
    ensures
        final(base)@ == merge(old(base)@, overlay@),
        keys_distinct_everywhere(overlay@),
{
    let mut b = Json::Null;
    std::mem::swap(&mut b, base);
    *base = merged(b, overlay);
}

/// The merge of `overlay` into `base`, consuming `base`.
#[verifier::loop_isolation(false)]
fn merged(base: Json, overlay: &Json) -> (r: Json)
    ensures
        r@ == merge(base@, overlay@),
        keys_distinct_everywhere(overlay@),
    decreases overlay,
{
    match base {
        Json::Object(b) => match overlay {
            Json::Object(o) => {
                let mut m = b;
                let n = o.entries.len();
                for i in 0..n
                    invariant
                        n == o.entries.len(),
                        n == o@.len(),
                        m@ == merge_members(b@, o@.subrange(0, i as int)),
                        forall|j: int| 0 <= j < i ==> keys_distinct_everywhere(#[trigger] o@[j].1),
                {
                    let key = &o.entries[i].0;
                    let val = &o.entries[i].1;
                    proof {
                        assert(decreases_to!(overlay => o.entries[i as int].1));
                        assert(o@.subrange(0, i + 1).subrange(0, i as int) =~= o@.subrange(0, i as int));
                        assert(o@.subrange(0, i + 1)[i as int] == o@[i as int]);
                    }
                    let ghost before = m@;
                    match m.find(key) {
                        Some(j) => {
                            proof {
                                lemma_key_index(before, key@);
                            }
                            let old_v = m.swap_value(j, Json::Null);
                            let new_v = merged(old_v, val);
                            m.swap_value(j, new_v);
                            assert(m@ =~= merge_member(before, key@, val@));
                        },
                        None => {
                            m.insert(key.clone(), val.clone_json());
                            assert(m@ =~= merge_member(before, key@, val@));
                        },
                    }
                }
                assert(o@.subrange(0, n as int) =~= o@);
                proof {
                    use_type_invariant(o);
                    lemma_members_keys_distinct_everywhere_from_each(o@);
                }
                Json::Object(m)
            },
            _ => overlay.clone_json(),
        },
        _ => overlay.clone_json(),
    }
}

} // verus!
