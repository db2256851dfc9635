//! Sticky existence versus readiness.
//!
//! - `Exists` is a sticky signal (a Helm revision above zero, a non-empty id
//!   or arn). It alone gates the render of dependent resources.
//! - `Ready` is the condition Ready=True. It gates status and Usage locks only.
use vstd::prelude::*;

verus! {

/// Sticky existence: the signal that gates the render of dependent resources.
#[derive(Debug, Clone, Copy, PartialEq, Eq, Structural)]
pub struct Exists(pub bool);

impl Exists {
    /// The resource exists.
    pub fn yes() -> (r: Self)
        ensures
            r.0,
    {
        Exists(true)
    }

    /// The resource does not exist (yet).
    pub fn no() -> (r: Self)
        ensures
            !r.0,
    {
        Exists(false)
    }

    pub fn is_set(self) -> (r: bool)
        ensures
            r == self.0,
    {
        self.0
    }

    /// Helm's sticky signal: a revision above zero means installed at least once.
    pub fn from_helm_revision(revision: i64) -> (r: Self)
        ensures
            r.0 == (revision > 0),
    {
        Exists(revision > 0)
    }

    /// A sticky id or arn that is present and not empty.
    pub fn from_nonempty(s: Option<&str>) -> (r: Self)
        ensures
            r.0 == (s is Some && s->0@.len() > 0),
    {
        match s {
            Some(v) => Exists(!v.is_empty()),
            None => Exists(false),
        }
    }

    /// The resource's key is present among the observed resources (a weaker
    /// signal than a sticky field).
    pub fn from_observed_entry(present: bool) -> (r: Self)
        ensures
            r.0 == present,
    {
        Exists(present)
    }
}

impl core::ops::BitAnd for Exists {
    type Output = Self;

    fn bitand(self, rhs: Self) -> (r: Self) {
        Exists(self.0 && rhs.0)
    }
}

impl vstd::std_specs::ops::BitAndSpecImpl for Exists {
    open spec fn obeys_bitand_spec() -> bool {
        true
    }

    open spec fn bitand_req(self, rhs: Self) -> bool {
        true
    }

    open spec fn bitand_spec(self, rhs: Self) -> Self {
        Exists(self.0 && rhs.0)
    }
}

impl Default for Exists {
    fn default() -> (r: Self)
        ensures
            !r.0,
    {
        Exists(false)
    }
}

/// Condition Ready=True: never a gate for rendering dependent resources.
#[derive(Debug, Clone, Copy, PartialEq, Eq, Structural)]
pub struct Ready(pub bool);

impl Ready {
    /// The resource is ready.
    pub fn yes() -> (r: Self)
        ensures
            r.0,
    {
        Ready(true)
    }

    /// The resource is not ready.
    pub fn no() -> (r: Self)
        ensures
            !r.0,
    {
        Ready(false)
    }

    pub fn is_set(self) -> (r: bool)
        ensures
            r == self.0,
    {
        self.0
    }
}

impl core::ops::BitAnd for Ready {
    type Output = Self;

    fn bitand(self, rhs: Self) -> (r: Self) {
        Ready(self.0 && rhs.0)
    }
}

impl vstd::std_specs::ops::BitAndSpecImpl for Ready {
    open spec fn obeys_bitand_spec() -> bool {
        true
    }

    open spec fn bitand_req(self, rhs: Self) -> bool {
        true
    }

    open spec fn bitand_spec(self, rhs: Self) -> Self {
        Ready(self.0 && rhs.0)
    }
}

impl Default for Ready {
    fn default() -> (r: Self)
        ensures
            !r.0,
    {
        Ready(false)
    }
}

/// Both signals observed for one composed resource.
#[derive(Debug, Clone, Copy, PartialEq, Eq, Structural)]
pub struct ObservedSlice {
    pub exists: Exists,
    pub ready: Ready,
}

impl ObservedSlice {
    pub fn new(exists: Exists, ready: Ready) -> (r: Self)
        ensures
            r.exists == exists,
            r.ready == ready,
    {
        ObservedSlice { exists, ready }
    }

    /// A resource not observed at all: neither existing nor ready.
    pub fn missing() -> (r: Self)
        ensures
            !r.exists.0,
            !r.ready.0,
    {
        ObservedSlice { exists: Exists(false), ready: Ready(false) }
    }

    /// A Helm release: exists once its revision is above zero, ready as reported.
    pub fn helm(revision: i64, ready: bool) -> (r: Self)
        ensures
            r.exists.0 == (revision > 0),
            r.ready.0 == ready,
    {
        ObservedSlice { exists: Exists::from_helm_revision(revision), ready: Ready(ready) }
    }
}

impl Default for ObservedSlice {
    fn default() -> (r: Self)
        ensures
            !r.exists.0,
            !r.ready.0,
    {
        ObservedSlice::missing()
    }
}

} // verus!
