//! The desired composed resources of one reconcile, with layered gates.
//!
//! Resources are kept by name in insertion order. `under_exists` runs a layer
//! only when its sticky existence gate is set; `usage_when_ready` emits a
//! Usage lock only when its readiness gate is set.
use crate::gate::{Exists, Ready};
use crate::json::{
    has_key, keys_distinct, law_insert_keeps_keys_distinct, lookup, members_insert, Json,
    JsonView,
};
use indexmap::IndexMap;
use vstd::prelude::*;

verus! {

#[verifier::external_type_specification]
#[verifier::external_body]
#[verifier::reject_recursive_types(K)]
#[verifier::reject_recursive_types(V)]
#[verifier::reject_recursive_types(S)]
pub struct ExIndexMap<K, V, S>(IndexMap<K, V, S>);

/// A stable composition resource name (`crossplane.io/composition-resource-name`).
pub type ResourceName = String;

/// One desired composed resource.
#[derive(Debug, PartialEq)]
pub struct DesiredResource {
    pub body: Json,
}

impl Clone for DesiredResource {
    fn clone(&self) -> (r: Self)
        ensures
            r.body@ == self.body@,
    {
        DesiredResource { body: self.body.clone_json() }
    }
}

/// The members of an insertion-ordered map of desired resources, in order:
/// each name with the view of its resource's body.
pub uninterp spec fn desired_entries(m: IndexMap<String, DesiredResource>) -> Seq<
    (Seq<char>, JsonView),
>;

/// Calls `IndexMap::new`: the new map holds nothing.
#[verifier::external_body]
fn map_new() -> (m: IndexMap<String, DesiredResource>)
    ensures
        desired_entries(m) == Seq::<(Seq<char>, JsonView)>::empty(),
{
    IndexMap::new()
}

/// Calls `IndexMap::insert`: a key already present keeps its place and takes
/// the new value; a new key is appended last.
#[verifier::external_body]
fn map_insert(m: &mut IndexMap<String, DesiredResource>, key: String, value: DesiredResource)
    ensures
        desired_entries(*final(m)) == members_insert(desired_entries(*old(m)), key@, value.body@),
{
    m.insert(key, value);
}

/// Calls `IndexMap::contains_key`: whether some entry has the key.
#[verifier::external_body]
fn map_contains_key(m: &IndexMap<String, DesiredResource>, key: &str) -> (r: bool)
    ensures
        r == has_key(desired_entries(*m), key@),
{
    m.contains_key(key)
}

/// Calls `IndexMap::get`: the value of the entry with the key, if any.
#[verifier::external_body]
fn map_get<'a>(m: &'a IndexMap<String, DesiredResource>, key: &str) -> (r: Option<
    &'a DesiredResource,
>)
    ensures
        match r {
            Some(v) => lookup(desired_entries(*m), key@) == Some(v.body@),
            None => lookup(desired_entries(*m), key@) is None,
        },
{
    m.get(key)
}

/// Calls `IndexMap::len`: the number of entries.
#[verifier::external_body]
fn map_len(m: &IndexMap<String, DesiredResource>) -> (r: usize)
    ensures
        r == desired_entries(*m).len(),
{
    m.len()
}

/// Calls `IndexMap::is_empty`: whether there are no entries.
#[verifier::external_body]
fn map_is_empty(m: &IndexMap<String, DesiredResource>) -> (r: bool)
    ensures
        r == (desired_entries(*m).len() == 0),
{
    m.is_empty()
}

/// Calls `IndexMap::get_index`: the entry at position `i`, if there is one.
#[verifier::external_body]
fn map_get_index<'a>(m: &'a IndexMap<String, DesiredResource>, i: usize) -> (r: Option<
    (&'a String, &'a DesiredResource),
>)
    ensures
        match r {
            Some((k, v)) => {
                &&& i < desired_entries(*m).len()
                &&& k@ == desired_entries(*m)[i as int].0
                &&& v.body@ == desired_entries(*m)[i as int].1
            },
            None => i >= desired_entries(*m).len(),
        },
{
    m.get_index(i)
}

/// Calls `IndexMap::clone`: the copy holds the same keys in the same order,
/// each value a clone of the original's (a `DesiredResource` clone keeps the
/// body's view).
#[verifier::external_body]
fn map_clone(m: &IndexMap<String, DesiredResource>) -> (r: IndexMap<String, DesiredResource>)
    ensures
        desired_entries(r) == desired_entries(*m),
{
    m.clone()
}

/// The accumulated desired resources of one reconcile.
#[derive(Debug)]
pub struct Desired {
    resources: IndexMap<ResourceName, DesiredResource>,
}

impl View for Desired {
    type V = Seq<(Seq<char>, JsonView)>;

    closed spec fn view(&self) -> Seq<(Seq<char>, JsonView)> {
        desired_entries(self.resources)
    }
}

impl Desired {
    #[verifier::type_invariant]
    spec fn names_distinct(self) -> bool {
        keys_distinct(desired_entries(self.resources))
    }

    /// No resources yet.
    pub fn new() -> (r: Self)
        ensures
            r@ == Seq::<(Seq<char>, JsonView)>::empty(),
    {
        Desired { resources: map_new() }
    }

    /// Emits a resource into the root layer: no gate. A name already emitted
    /// keeps its place and takes the new body.
    pub fn emit(&mut self, name: &str, body: Json)
        ensures
            final(self)@ == members_insert(old(self)@, name@, body@),
            keys_distinct(final(self)@),
    {
        proof {
            use_type_invariant(&*self);
            law_insert_keeps_keys_distinct(self@, name@, body@);
        }
        let mut m = map_new();
        std::mem::swap(&mut m, &mut self.resources);
        map_insert(&mut m, name.to_owned(), DesiredResource { body });
        self.resources = m;
    }

    /// A layer under a sticky existence gate: `f` runs only when that gate is
    /// set; otherwise nothing is added.
    pub fn under_exists(&mut self, gate: Exists, f: impl FnOnce(Desired) -> Desired)
        requires
            gate.0 ==> f.requires((*old(self),)),
        ensures
            gate.0 ==> f.ensures((*old(self),), *final(self)),
            !gate.0 ==> *final(self) == *old(self),
            keys_distinct(final(self)@),
    {
        if gate.is_set() {
            let mut cur = Desired::new();
            std::mem::swap(&mut cur, self);
            *self = f(cur);
        }
        proof {
            use_type_invariant(&*self);
        }
    }

    /// A Usage lock, gated on readiness: emitted only when that gate is set.
    pub fn usage_when_ready(&mut self, gate: Ready, name: &str, body: Json)
        ensures
            gate.0 ==> final(self)@ == members_insert(old(self)@, name@, body@),
            !gate.0 ==> final(self)@ == old(self)@,
            keys_distinct(final(self)@),
    {
        if gate.is_set() {
            self.emit(name, body);
        }
        proof {
            use_type_invariant(&*self);
        }
    }

    /// Whether a resource of that name was emitted.
    pub fn contains(&self, name: &str) -> (r: bool)
        ensures
            r == has_key(self@, name@),
    {
        map_contains_key(&self.resources, name)
    }

    /// The names of the emitted resources, in the order of first emission.
    pub fn names(&self) -> (r: Vec<&str>)
        ensures
            r@.len() == self@.len(),
            forall|i: int| 0 <= i < r@.len() ==> (#[trigger] r@[i])@ == self@[i].0,
            keys_distinct(self@),
    {
        proof {
            use_type_invariant(self);
        }
        let n = map_len(&self.resources);
        let mut out: Vec<&str> = Vec::new();
        for i in 0..n
            invariant
                n == self@.len(),
                out@.len() == i,
                forall|j: int| 0 <= j < i ==> (#[trigger] out@[j])@ == self@[j].0,
        {
            match map_get_index(&self.resources, i) {
                Some((k, _)) => {
                    out.push(k.as_str());
                },
                None => {},
            }
        }
        out
    }

    /// The resource of that name, if it was emitted.
    pub fn get(&self, name: &str) -> (r: Option<&DesiredResource>)
        ensures
            match r {
                Some(v) => lookup(self@, name@) == Some(v.body@),
                None => lookup(self@, name@) is None,
            },
    {
        map_get(&self.resources, name)
    }

    /// The number of emitted resources.
    pub fn len(&self) -> (r: usize)
        ensures
            r == self@.len(),
    {
        map_len(&self.resources)
    }

    /// Whether nothing was emitted.
    pub fn is_empty(&self) -> (r: bool)
        ensures
            r == (self@.len() == 0),
    {
        map_is_empty(&self.resources)
    }
}

impl Clone for Desired {
    fn clone(&self) -> (r: Self)
        ensures
            r@ == self@,
    {
        proof {
            use_type_invariant(self);
        }
        Desired { resources: map_clone(&self.resources) }
    }
}

impl Default for Desired {
    fn default() -> (r: Self)
        ensures
            r@ == Seq::<(Seq<char>, JsonView)>::empty(),
    {
        Desired::new()
    }
}

} // verus!
