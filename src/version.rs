//! API kinds and version numbers.
use vstd::prelude::*;

verus! {

/// The family of graphics API a context belongs to.
#[derive(Copy, Clone, Debug, PartialEq, Eq, Structural)]
pub enum Api {
    /// Desktop OpenGL.
    Gl,
    /// OpenGL ES, the embedded profile.
    GlEs,
}

/// A version of an API: its kind, its major and its minor number.
///
/// Two versions of different kinds are never ordered against each other.
#[derive(Copy, Clone, Debug, PartialEq, Eq, Structural)]
pub struct Version(pub Api, pub u8, pub u8);

/// `v` is of kind `api` and at least `major.minor`.
pub open spec fn at_least_spec(v: Version, api: Api, major: u8, minor: u8) -> bool {
    v.0 == api && (v.1 > major || (v.1 == major && v.2 >= minor))
}

/// `v` is of kind `api` and at most `major.minor`.
pub open spec fn at_most_spec(v: Version, api: Api, major: u8, minor: u8) -> bool {
    v.0 == api && (v.1 < major || (v.1 == major && v.2 <= minor))
}

/// `a` and `b` are of the same kind and `a` does not come after `b`.
pub open spec fn version_le(a: Version, b: Version) -> bool {
    a.0 == b.0 && (a.1 < b.1 || (a.1 == b.1 && a.2 <= b.2))
}

impl Version {
    /// True when this version is of kind `api` and not older than `major.minor`.
    ///
    /// A version of another kind is never at least the threshold: thresholds of
    /// one kind do not apply to the other.
    pub fn at_least(&self, api: Api, major: u8, minor: u8) -> (r: bool)
        ensures
            r == at_least_spec(*self, api, major, minor),
    {
        self.0 == api && (self.1 > major || (self.1 == major && self.2 >= minor))
    }

    /// True when this version is of kind `api` and not newer than `major.minor`.
    pub fn at_most(&self, api: Api, major: u8, minor: u8) -> (r: bool)
        ensures
            r == at_most_spec(*self, api, major, minor),
    {
        self.0 == api && (self.1 < major || (self.1 == major && self.2 <= minor))
    }
}

/// A version threshold holds of every later version of the same kind.
pub proof fn lemma_at_least_monotone(v1: Version, v2: Version, api: Api, major: u8, minor: u8)
    requires
        version_le(v1, v2),
        at_least_spec(v1, api, major, minor),
    ensures
        at_least_spec(v2, api, major, minor),
{
}

/// A threshold of one API kind never holds of a version of the other kind.
pub proof fn lemma_no_cross_kind(v: Version, api: Api, major: u8, minor: u8)
    requires
        v.0 != api,
    ensures
        !at_least_spec(v, api, major, minor),
        !at_most_spec(v, api, major, minor),
{
}

} // verus!
