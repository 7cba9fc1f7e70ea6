use vstd::prelude::*;
use crate::bytes::Bytes;

verus! {

/// A matcher of one of the known list kinds, with its kind kept: the form in
/// which matchers are compared, cloned and stored.
#[derive(Clone, Copy, Debug, PartialEq, Eq, Structural)]
pub enum AnyListMatcher {
    /// A matcher of the `AlwaysList` kind.
    Always(AlwaysListMatcher),
    /// A matcher of the `NeverList` kind.
    Never(NeverListMatcher),
}

impl AnyListMatcher {
    /// Both matchers are of the same list kind.
    pub open spec fn same_kind(&self, other: AnyListMatcher) -> bool {
        match (self, other) {
            (AnyListMatcher::Always(_), AnyListMatcher::Always(_)) => true,
            (AnyListMatcher::Never(_), AnyListMatcher::Never(_)) => true,
            _ => false,
        }
    }
}

/// Gives a matcher as a value of the kind-tagged type.
pub trait AsAny {
    /// The matcher, tagged with its kind.
    spec fn as_any_spec(&self) -> AnyListMatcher;

    /// The matcher, tagged with its kind.
    fn as_any(&self) -> (r: AnyListMatcher)
        ensures
            r == self.as_any_spec(),
    ;
}

/// Equality against a matcher whose kind is only known at run time.
pub trait DynPartialEq: AsAny {
    /// True exactly when `other` is of the same kind and equal to `self`.
    fn dyn_eq(&self, other: &AnyListMatcher) -> (r: bool)
        ensures
            r == (self.as_any_spec() == *other),
    ;
}

/// A live list: answers whether a value belongs to it.
pub trait ListMatcher: DynPartialEq {
    /// Whether `val` is in the list named `list_name`.
    spec fn holds(&self, list_name: Seq<char>, val: Seq<u8>) -> bool;

    /// Returns true if `val` is in the given list.
    fn match_value(&self, list_name: &str, val: &Bytes) -> (r: bool)
        ensures
            r == self.holds(list_name@, val@),
    ;

    /// Clears the list matcher, removing all its content.
    fn clear(&mut self)
        ensures
            forall|n: Seq<char>, v: Seq<u8>| !final(self).holds(n, v),
            final(self).as_any_spec().same_kind(old(self).as_any_spec()),
    ;
}

/// Describes a list kind and builds matchers of it.
pub trait ListDefinition {
    /// The empty matcher of this kind.
    spec fn empty_matcher(&self) -> AnyListMatcher;

    /// Creates a new, empty matcher object for this list.
    fn new_matcher(&self) -> (r: AnyListMatcher)
        ensures
            r == self.empty_matcher(),
            forall|n: Seq<char>, v: Seq<u8>| !r.holds(n, v),
    ;
}

/// List that always matches.
pub struct AlwaysList {}

/// Matcher for `AlwaysList`.
#[derive(Clone, Copy, Debug, PartialEq, Eq, Structural)]
pub struct AlwaysListMatcher {}

/// List that never matches.
pub struct NeverList {}

/// Matcher for `NeverList`.
#[derive(Clone, Copy, Debug, PartialEq, Eq, Structural)]
pub struct NeverListMatcher {}

impl ListDefinition for AlwaysList {
    open spec fn empty_matcher(&self) -> AnyListMatcher {
        AnyListMatcher::Always(AlwaysListMatcher {})
    }

    fn new_matcher(&self) -> (r: AnyListMatcher) {
        AnyListMatcher::Always(AlwaysListMatcher {})
    }
}

impl ListDefinition for NeverList {
    open spec fn empty_matcher(&self) -> AnyListMatcher {
        AnyListMatcher::Never(NeverListMatcher {})
    }

    fn new_matcher(&self) -> (r: AnyListMatcher) {
        AnyListMatcher::Never(NeverListMatcher {})
    }
}

impl AsAny for AlwaysListMatcher {
    open spec fn as_any_spec(&self) -> AnyListMatcher {
        AnyListMatcher::Always(*self)
    }

    fn as_any(&self) -> (r: AnyListMatcher) {
        AnyListMatcher::Always(*self)
    }
}

impl DynPartialEq for AlwaysListMatcher {
    fn dyn_eq(&self, other: &AnyListMatcher) -> (r: bool) {
        match other {
            AnyListMatcher::Always(o) => *self == *o,
            _ => false,
        }
    }
}

impl ListMatcher for AlwaysListMatcher {
    /// This kind holds no value: the query is false whatever is asked.
    open spec fn holds(&self, list_name: Seq<char>, val: Seq<u8>) -> bool {
        false
    }

    fn match_value(&self, _list_name: &str, _val: &Bytes) -> (r: bool) {
        false
    }

    fn clear(&mut self) {
    }
}

impl AsAny for NeverListMatcher {
    open spec fn as_any_spec(&self) -> AnyListMatcher {
        AnyListMatcher::Never(*self)
    }

    fn as_any(&self) -> (r: AnyListMatcher) {
        AnyListMatcher::Never(*self)
    }
}

impl DynPartialEq for NeverListMatcher {
    fn dyn_eq(&self, other: &AnyListMatcher) -> (r: bool) {
        match other {
            AnyListMatcher::Never(o) => *self == *o,
            _ => false,
        }
    }
}

impl ListMatcher for NeverListMatcher {
    /// This kind holds no value.
    open spec fn holds(&self, list_name: Seq<char>, val: Seq<u8>) -> bool {
        false
    }

    fn match_value(&self, _list_name: &str, _val: &Bytes) -> (r: bool) {
        false
    }

    fn clear(&mut self) {
    }
}

impl AsAny for AnyListMatcher {
    open spec fn as_any_spec(&self) -> AnyListMatcher {
        *self
    }

    fn as_any(&self) -> (r: AnyListMatcher) {
        *self
    }
}

impl DynPartialEq for AnyListMatcher {
    fn dyn_eq(&self, other: &AnyListMatcher) -> (r: bool) {
        *self == *other
    }
}

impl ListMatcher for AnyListMatcher {
    open spec fn holds(&self, list_name: Seq<char>, val: Seq<u8>) -> bool {
        match self {
            AnyListMatcher::Always(m) => m.holds(list_name, val),
            AnyListMatcher::Never(m) => m.holds(list_name, val),
        }
    }

    fn match_value(&self, list_name: &str, val: &Bytes) -> (r: bool) {
        match self {
            AnyListMatcher::Always(m) => m.match_value(list_name, val),
            AnyListMatcher::Never(m) => m.match_value(list_name, val),
        }
    }

    fn clear(&mut self) {
        match self {
            AnyListMatcher::Always(m) => m.clear(),
            AnyListMatcher::Never(m) => m.clear(),
        }
    }
}

/// Matchers compare equal only within one kind: two `AlwaysList` matchers
/// are equal, and an `AlwaysList` matcher never equals a `NeverList` one,
/// in either order.
pub proof fn lemma_matcher_kinds_compare(a: AlwaysListMatcher, b: AlwaysListMatcher, n: NeverListMatcher)
    ensures
        a.as_any_spec() == b.as_any_spec(),
        a.as_any_spec() != n.as_any_spec(),
        n.as_any_spec() != a.as_any_spec(),
{
}

/// The built-in kinds hold no value under any list name, cleared or not.
pub proof fn lemma_builtin_kinds_hold_nothing(m: AnyListMatcher, n: Seq<char>, v: Seq<u8>)
    ensures
        !m.holds(n, v),
{
}

} // verus!
